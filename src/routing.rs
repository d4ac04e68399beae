//! Routing policy: which VMs a device goes to.
use vstd::prelude::*;
use crate::text::str_eq;

verus! {

/// The routing table, loaded once at start and never changed: device key
/// (`"vvvv:pppp"`) to VM ids in configured order, and an optional default
/// VM that every device also goes to.
#[derive(Debug)]
pub struct Configuration {
    pub device_mapping: Vec<(String, Vec<i32>)>,
    pub default_target: Option<i32>,
}

/// The VM list of the first entry whose key is `key`.
pub open spec fn mapped_targets(entries: Seq<(String, Vec<i32>)>, key: Seq<char>) -> Option<
    Seq<i32>,
>
    decreases entries.len(),
{
    if entries.len() == 0 {
        None
    } else if entries[0].0@ == key {
        Some(entries[0].1@)
    } else {
        mapped_targets(entries.drop_first(), key)
    }
}

pub open spec fn default_seq(default_target: Option<i32>) -> Seq<i32> {
    match default_target {
        Some(t) => seq![t],
        None => Seq::empty(),
    }
}

/// The targets of a key: the configured list, if any, followed by the
/// default target, if set. Duplicates are kept.
pub open spec fn resolve_targets(config: Configuration, key: Seq<char>) -> Seq<i32> {
    match mapped_targets(config.device_mapping@, key) {
        Some(t) => t + default_seq(config.default_target),
        None => default_seq(config.default_target),
    }
}

/// The position of the first entry whose key is `key`.
fn mapped_index(entries: &Vec<(String, Vec<i32>)>, key: &str) -> (r: Option<usize>)
    ensures
        match r {
            Some(k) => k < entries@.len() && mapped_targets(entries@, key@) == Some(
                entries@[k as int].1@,
            ),
            None => mapped_targets(entries@, key@) is None,
        },
{
    let mut i: usize = 0;
    assert(entries@.subrange(0, entries@.len() as int) =~= entries@);
    while i < entries.len()
        invariant
            i <= entries@.len(),
            mapped_targets(entries@, key@) == mapped_targets(
                entries@.subrange(i as int, entries@.len() as int),
                key@,
            ),
        decreases entries.len() - i,
    {
        let ghost rest = entries@.subrange(i as int, entries@.len() as int);
        assert(rest[0] == entries@[i as int]);
        if str_eq(entries[i].0.as_str(), key) {
            return Some(i);
        }
        i = i + 1;
        assert(rest.drop_first() =~= entries@.subrange(i as int, entries@.len() as int));
    }
    assert(entries@.subrange(i as int, entries@.len() as int) =~= Seq::<(String, Vec<i32>)>::empty());
    None
}

/// The VMs, in order, that a device with routing key `identifier` goes to.
pub fn find_vids_for(config: &Configuration, identifier: &str) -> (r: Vec<i32>)
    ensures
        r@ == resolve_targets(*config, identifier@),
{
    let mut out: Vec<i32> = match mapped_index(&config.device_mapping, identifier) {
        Some(k) => config.device_mapping[k].1.clone(),
        None => Vec::new(),
    };
    match config.default_target {
        Some(t) => out.push(t),
        None => {},
    }
    assert(out@ =~= resolve_targets(*config, identifier@));
    out
}

/// For every table and key: a key that is not in the table resolves to the
/// default target alone, so to nothing when no default is set; a key in the
/// table resolves to its configured list followed by the default, which is
/// appended even when the list already holds it.
pub proof fn law_resolve_targets(config: Configuration, key: Seq<char>)
    ensures
        mapped_targets(config.device_mapping@, key) is None && config.default_target is None
            ==> resolve_targets(config, key) == Seq::<i32>::empty(),
        mapped_targets(config.device_mapping@, key) is None && config.default_target is Some
            ==> resolve_targets(config, key) == seq![config.default_target->Some_0],
        mapped_targets(config.device_mapping@, key) matches Some(t) ==> {
            &&& config.default_target is None ==> resolve_targets(config, key) == t
            &&& config.default_target matches Some(d) ==> resolve_targets(config, key) == t.push(
                d,
            )
            &&& resolve_targets(config, key).len() == t.len() + (if config.default_target is Some {
                1int
            } else {
                0int
            })
        },
{
    if let Some(t) = mapped_targets(config.device_mapping@, key) {
        assert(t + Seq::<i32>::empty() =~= t);
        if let Some(d) = config.default_target {
            assert(t + seq![d] =~= t.push(d));
        }
    }
}

} // verus!
