//! A model of how exclusive rights move through a program.
//!
//! The live exclusive tokens of a program are named by numbers; each has a
//! footprint, the set of fields it covers. A register token covers all its
//! fields, a field token one field, and a peripheral handle the union of the
//! tokens it was composed from. Forking a register and decomposing a handle
//! split a footprint; joining and composing merge footprints; the registry
//! hands out new footprints and takes them back.
use crate::token::FieldId;
use vstd::prelude::*;

verus! {

/// One ownership step.
pub enum Transfer {
    /// A new token, named by the first value, is handed out for the fields
    /// of the second. Refused if the name is in use or one of the fields is
    /// already covered by a live token.
    Acquire(nat, Set<FieldId>),
    /// The token of this name is given back.
    Release(nat),
    /// The fields of the third value are moved from the token named first
    /// to a new token named second (fork, decompose). Refused unless the
    /// source covers all of them and the new name is free.
    Split(nat, nat, Set<FieldId>),
    /// The token named second is absorbed into the token named first (join,
    /// compose).
    Merge(nat, nat),
}

/// No field is covered by two distinct live tokens.
pub open spec fn no_alias(live: Map<nat, Set<FieldId>>) -> bool {
    forall|a: nat, b: nat|
        live.contains_key(a) && live.contains_key(b) && a != b ==> (#[trigger] live[a]).disjoint(
            #[trigger] live[b],
        )
}

/// Whether `fp` shares no field with any live token.
pub open spec fn is_free(live: Map<nat, Set<FieldId>>, fp: Set<FieldId>) -> bool {
    forall|k: nat| #[trigger] live.contains_key(k) ==> live[k].disjoint(fp)
}

/// The fields covered by some live token: what the registry holds.
pub open spec fn covered(live: Map<nat, Set<FieldId>>) -> Set<FieldId> {
    Set::new(|f: FieldId| exists|k: nat| #[trigger] live.contains_key(k) && live[k].contains(f))
}

/// The live tokens after one step.
pub open spec fn step(live: Map<nat, Set<FieldId>>, t: Transfer) -> Map<nat, Set<FieldId>> {
    match t {
        Transfer::Acquire(n, fp) => if !live.contains_key(n) && is_free(live, fp) {
            live.insert(n, fp)
        } else {
            live
        },
        Transfer::Release(n) => live.remove(n),
        Transfer::Split(src, n, part) => if live.contains_key(src) && !live.contains_key(n)
            && part.subset_of(live[src]) {
            live.insert(src, live[src] - part).insert(n, part)
        } else {
            live
        },
        Transfer::Merge(a, b) => if live.contains_key(a) && live.contains_key(b) && a != b {
            live.remove(b).insert(a, live[a] + live[b])
        } else {
            live
        },
    }
}

/// The live tokens after a sequence of steps.
pub open spec fn run(live: Map<nat, Set<FieldId>>, ops: Seq<Transfer>) -> Map<
    nat,
    Set<FieldId>,
>
    decreases ops.len(),
{
    if ops.len() == 0 {
        live
    } else {
        run(step(live, ops[0]), ops.drop_first())
    }
}

/// Every kind of step keeps live tokens free of aliasing.
pub proof fn lemma_step_no_alias(live: Map<nat, Set<FieldId>>, t: Transfer)
    requires
        no_alias(live),
    ensures
        no_alias(step(live, t)),
{
    let out = step(live, t);
    match t {
        Transfer::Acquire(n, fp) => {
            if !live.contains_key(n) && is_free(live, fp) {
                assert forall|a: nat, b: nat|
                    out.contains_key(a) && out.contains_key(b) && a != b implies (
                    #[trigger] out[a]).disjoint(#[trigger] out[b]) by {
                    if a == n {
                        assert(live[b].disjoint(fp));
                    } else if b == n {
                        assert(live[a].disjoint(fp));
                    } else {
                        assert(live[a].disjoint(live[b]));
                    }
                }
            }
        },
        Transfer::Release(n) => {
            assert forall|a: nat, b: nat|
                out.contains_key(a) && out.contains_key(b) && a != b implies (
                #[trigger] out[a]).disjoint(#[trigger] out[b]) by {
                assert(live[a].disjoint(live[b]));
            }
        },
        Transfer::Split(src, n, part) => {
            if live.contains_key(src) && !live.contains_key(n) && part.subset_of(live[src]) {
                assert forall|a: nat, b: nat|
                    out.contains_key(a) && out.contains_key(b) && a != b implies (
                    #[trigger] out[a]).disjoint(#[trigger] out[b]) by {
                    if a == n {
                        if b != src {
                            assert(live[src].disjoint(live[b]));
                        }
                    } else if b == n {
                        if a != src {
                            assert(live[src].disjoint(live[a]));
                        }
                    } else if a == src {
                        assert(live[src].disjoint(live[b]));
                    } else if b == src {
                        assert(live[src].disjoint(live[a]));
                    } else {
                        assert(live[a].disjoint(live[b]));
                    }
                }
            }
        },
        Transfer::Merge(x, y) => {
            if live.contains_key(x) && live.contains_key(y) && x != y {
                assert forall|a: nat, b: nat|
                    out.contains_key(a) && out.contains_key(b) && a != b implies (
                    #[trigger] out[a]).disjoint(#[trigger] out[b]) by {
                    if a == x {
                        assert(live[x].disjoint(live[b]));
                        assert(live[y].disjoint(live[b]));
                    } else if b == x {
                        assert(live[x].disjoint(live[a]));
                        assert(live[y].disjoint(live[a]));
                    } else {
                        assert(live[a].disjoint(live[b]));
                    }
                }
            }
        },
    }
}

/// However a program acquires, forks, joins, composes, decomposes and
/// releases tokens, no two live exclusive tokens ever cover the same field,
/// provided none did at the start (at boot nothing is live).
pub proof fn lemma_no_two_exclusive(live: Map<nat, Set<FieldId>>, ops: Seq<Transfer>)
    requires
        no_alias(live),
    ensures
        no_alias(run(live, ops)),
    decreases ops.len(),
{
    if ops.len() > 0 {
        lemma_step_no_alias(live, ops[0]);
        lemma_no_two_exclusive(step(live, ops[0]), ops.drop_first());
    }
}

/// A request for an exclusive token over a field that a live token already
/// covers is refused: nothing changes.
pub proof fn lemma_second_acquire_refused(
    live: Map<nat, Set<FieldId>>,
    holder: nat,
    field: FieldId,
    n: nat,
    fp: Set<FieldId>,
)
    requires
        live.contains_key(holder),
        live[holder].contains(field),
        fp.contains(field),
    ensures
        step(live, Transfer::Acquire(n, fp)) == live,
{
    assert(!live[holder].disjoint(fp));
}

/// A registry whose held set is what the live tokens cover hands out a
/// footprint exactly when the model accepts its acquisition: the checks of
/// `TokenRegistry::take_field` and `TokenRegistry::take_register` are the
/// check of `Transfer::Acquire`.
pub proof fn lemma_registry_agrees(live: Map<nat, Set<FieldId>>, fp: Set<FieldId>)
    ensures
        is_free(live, fp) <==> fp.disjoint(covered(live)),
{
    if is_free(live, fp) {
        assert forall|f: FieldId| fp.contains(f) implies !covered(live).contains(f) by {
            if covered(live).contains(f) {
                let k = choose|k: nat| #[trigger] live.contains_key(k) && live[k].contains(f);
                assert(live[k].disjoint(fp));
            }
        }
    }
    if fp.disjoint(covered(live)) {
        assert forall|k: nat| #[trigger] live.contains_key(k) implies live[k].disjoint(fp) by {
            assert forall|f: FieldId| live[k].contains(f) implies !fp.contains(f) by {
                assert(covered(live).contains(f));
            }
        }
    }
}

} // verus!
